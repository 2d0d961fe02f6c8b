//! The records inside a command, and the payload of each kind of command.
//!
//! Every record and payload has a spec function on its deep view that says
//! which value or which error a JSON object gives, and a decoder that
//! returns exactly that. The members are read in the order in which the
//! type declares them, and the first that cannot be read is the error.
//! Members that the type does not declare are not looked at.

use crate::error::FieldError;
use crate::field::Field;
use crate::json::{json_of, JsonValue};
use crate::payload::{
    Context, ContextPlayerOptionOverrides, PlayOrigin, ProvidedTrack, TransferState,
};
use crate::read::{
    optional_bytes, optional_embedded, optional_flag, optional_i64, optional_record, optional_text,
    optional_text_list, optional_u32, outcome, required_embedded, required_flag, required_record,
    required_text, required_tracks, required_u32,
};
use crate::request::{
    AddToQueueCommand, AddToQueueCommandView, GenericCommand, GenericCommandView, LoggingParams,
    LoggingParamsView, OptionsOptions, OptionsOptionsView, PauseCommand, PauseCommandView,
    PlayCommand, PlayCommandView, PlayOptions, PlayOptionsView, SeekToCommand, SeekToCommandView,
    SetOptionsCommand, SetOptionsCommandView, SetQueueCommand, SetQueueCommandView,
    SetValueCommand, SetValueCommandView, SkipNextCommand, SkipNextCommandView, SkipTo, SkipToView,
    TransferCommand, TransferCommandView, TransferOptions, TransferOptionsView,
    UpdateContextCommand, UpdateContextCommandView,
};
use serde_json::Value;
use vstd::prelude::*;

verus! {

impl LoggingParamsView {
    /// The record that the members of `record` make.
    pub open spec fn from_members(record: JsonValue) -> Result<LoggingParamsView, FieldError> {
        let interaction_ids = record.optional_text_list(Field::InteractionIds);
        let device_identifier = record.optional_text(Field::DeviceIdentifier);
        let command_initiated_time = record.optional_i64(Field::CommandInitiatedTime);
        let page_instance_ids = record.optional_text_list(Field::PageInstanceIds);
        let command_id = record.optional_text(Field::CommandId);
        if interaction_ids is Err {
            Err(interaction_ids->Err_0)
        } else if device_identifier is Err {
            Err(device_identifier->Err_0)
        } else if command_initiated_time is Err {
            Err(command_initiated_time->Err_0)
        } else if page_instance_ids is Err {
            Err(page_instance_ids->Err_0)
        } else if command_id is Err {
            Err(command_id->Err_0)
        } else {
            Ok(
                LoggingParamsView {
                    interaction_ids: interaction_ids->Ok_0,
                    device_identifier: device_identifier->Ok_0,
                    command_initiated_time: command_initiated_time->Ok_0,
                    page_instance_ids: page_instance_ids->Ok_0,
                    command_id: command_id->Ok_0,
                },
            )
        }
    }

    /// The record that the required member `field` of `object` holds.
    pub open spec fn read(
        object: JsonValue,
        field: Field,
    ) -> Result<LoggingParamsView, FieldError> {
        match object.required_record(field) {
            Ok(record) => LoggingParamsView::from_members(record),
            Err(error) => Err(error),
        }
    }
}

impl LoggingParams {
    /// Decodes the record that the members of `record` make.
    fn from_members(record: &Value) -> (read: Result<LoggingParams, FieldError>)
        ensures
            outcome(read) == LoggingParamsView::from_members(json_of(*record)),
    {
        let interaction_ids = optional_text_list(record, Field::InteractionIds)?;
        let device_identifier = optional_text(record, Field::DeviceIdentifier)?;
        let command_initiated_time = optional_i64(record, Field::CommandInitiatedTime)?;
        let page_instance_ids = optional_text_list(record, Field::PageInstanceIds)?;
        let command_id = optional_text(record, Field::CommandId)?;
        Ok(
            LoggingParams {
                interaction_ids,
                device_identifier,
                command_initiated_time,
                page_instance_ids,
                command_id,
            },
        )
    }

    /// Reads the record that the required member `field` of `object` holds.
    pub fn read(object: &Value, field: Field) -> (read: Result<LoggingParams, FieldError>)
        ensures
            outcome(read) == LoggingParamsView::read(json_of(*object), field),
    {
        let record = required_record(object, field)?;
        LoggingParams::from_members(record)
    }
}

impl TransferOptionsView {
    /// The record that the members of `record` make.
    pub open spec fn from_members(record: JsonValue) -> Result<TransferOptionsView, FieldError> {
        let restore_paused = record.required_text(Field::RestorePaused);
        let restore_position = record.required_text(Field::RestorePosition);
        let restore_track = record.required_text(Field::RestoreTrack);
        let retain_session = record.required_text(Field::RetainSession);
        if restore_paused is Err {
            Err(restore_paused->Err_0)
        } else if restore_position is Err {
            Err(restore_position->Err_0)
        } else if restore_track is Err {
            Err(restore_track->Err_0)
        } else if retain_session is Err {
            Err(retain_session->Err_0)
        } else {
            Ok(
                TransferOptionsView {
                    restore_paused: restore_paused->Ok_0,
                    restore_position: restore_position->Ok_0,
                    restore_track: restore_track->Ok_0,
                    retain_session: retain_session->Ok_0,
                },
            )
        }
    }

    /// The record that the required member `field` of `object` holds.
    pub open spec fn read(
        object: JsonValue,
        field: Field,
    ) -> Result<TransferOptionsView, FieldError> {
        match object.required_record(field) {
            Ok(record) => TransferOptionsView::from_members(record),
            Err(error) => Err(error),
        }
    }
}

impl TransferOptions {
    /// Decodes the record that the members of `record` make.
    fn from_members(record: &Value) -> (read: Result<TransferOptions, FieldError>)
        ensures
            outcome(read) == TransferOptionsView::from_members(json_of(*record)),
    {
        let restore_paused = required_text(record, Field::RestorePaused)?;
        let restore_position = required_text(record, Field::RestorePosition)?;
        let restore_track = required_text(record, Field::RestoreTrack)?;
        let retain_session = required_text(record, Field::RetainSession)?;
        Ok(TransferOptions { restore_paused, restore_position, restore_track, retain_session })
    }

    /// Reads the record that the required member `field` of `object` holds.
    pub fn read(object: &Value, field: Field) -> (read: Result<TransferOptions, FieldError>)
        ensures
            outcome(read) == TransferOptionsView::read(json_of(*object), field),
    {
        let record = required_record(object, field)?;
        TransferOptions::from_members(record)
    }
}

impl SkipToView {
    /// The record that the members of `record` make.
    pub open spec fn from_members(record: JsonValue) -> Result<SkipToView, FieldError> {
        let track_uid = record.optional_text(Field::TrackUid);
        let track_uri = record.optional_text(Field::TrackUri);
        let track_index = record.optional_u32(Field::TrackIndex);
        if track_uid is Err {
            Err(track_uid->Err_0)
        } else if track_uri is Err {
            Err(track_uri->Err_0)
        } else if track_index is Err {
            Err(track_index->Err_0)
        } else {
            Ok(
                SkipToView {
                    track_uid: track_uid->Ok_0,
                    track_uri: track_uri->Ok_0,
                    track_index: track_index->Ok_0,
                },
            )
        }
    }

    /// The record that the optional member `field` of `object` holds.
    pub open spec fn read_optional(object: JsonValue, field: Field) -> Result<
        Option<SkipToView>,
        FieldError,
    > {
        match object.optional_record(field) {
            Ok(Some(record)) => match SkipToView::from_members(record) {
                Ok(value) => Ok(Some(value)),
                Err(error) => Err(error),
            },
            Ok(None) => Ok(None),
            Err(error) => Err(error),
        }
    }
}

impl SkipTo {
    /// Decodes the record that the members of `record` make.
    fn from_members(record: &Value) -> (read: Result<SkipTo, FieldError>)
        ensures
            outcome(read) == SkipToView::from_members(json_of(*record)),
    {
        let track_uid = optional_text(record, Field::TrackUid)?;
        let track_uri = optional_text(record, Field::TrackUri)?;
        let track_index = optional_u32(record, Field::TrackIndex)?;
        Ok(SkipTo { track_uid, track_uri, track_index })
    }

    /// Reads the record that the optional member `field` of `object` holds.
    pub fn read_optional(object: &Value, field: Field) -> (read: Result<Option<SkipTo>, FieldError>)
        ensures
            outcome(read) == SkipToView::read_optional(json_of(*object), field),
    {
        match optional_record(object, field)? {
            Some(record) => Ok(Some(SkipTo::from_members(record)?)),
            None => Ok(None),
        }
    }
}

impl PlayOptionsView {
    /// The record that the members of `record` make.
    pub open spec fn from_members(record: JsonValue) -> Result<PlayOptionsView, FieldError> {
        let skip_to = SkipToView::read_optional(record, Field::SkipTo);
        let player_options_override = record.optional_embedded(Field::PlayerOptionsOverride);
        let license = record.optional_text(Field::License);
        let seek_to = record.optional_u32(Field::SeekTo);
        let always_play_something = record.optional_flag(Field::AlwaysPlaySomething);
        let audio_stream = record.optional_text(Field::AudioStream);
        let initially_paused = record.optional_flag(Field::InitiallyPaused);
        let prefetch_level = record.optional_text(Field::PrefetchLevel);
        let system_initiated = record.optional_flag(Field::SystemInitiated);
        if skip_to is Err {
            Err(skip_to->Err_0)
        } else if player_options_override is Err {
            Err(player_options_override->Err_0)
        } else if license is Err {
            Err(license->Err_0)
        } else if seek_to is Err {
            Err(seek_to->Err_0)
        } else if always_play_something is Err {
            Err(always_play_something->Err_0)
        } else if audio_stream is Err {
            Err(audio_stream->Err_0)
        } else if initially_paused is Err {
            Err(initially_paused->Err_0)
        } else if prefetch_level is Err {
            Err(prefetch_level->Err_0)
        } else if system_initiated is Err {
            Err(system_initiated->Err_0)
        } else {
            Ok(
                PlayOptionsView {
                    skip_to: skip_to->Ok_0,
                    player_options_override: player_options_override->Ok_0,
                    license: license->Ok_0,
                    seek_to: seek_to->Ok_0,
                    always_play_something: always_play_something->Ok_0,
                    audio_stream: audio_stream->Ok_0,
                    initially_paused: initially_paused->Ok_0,
                    prefetch_level: prefetch_level->Ok_0,
                    system_initiated: system_initiated->Ok_0,
                },
            )
        }
    }

    /// The record that the required member `field` of `object` holds.
    pub open spec fn read(object: JsonValue, field: Field) -> Result<PlayOptionsView, FieldError> {
        match object.required_record(field) {
            Ok(record) => PlayOptionsView::from_members(record),
            Err(error) => Err(error),
        }
    }
}

impl PlayOptions {
    /// Decodes the record that the members of `record` make.
    fn from_members(record: &Value) -> (read: Result<PlayOptions, FieldError>)
        ensures
            outcome(read) == PlayOptionsView::from_members(json_of(*record)),
    {
        let skip_to = SkipTo::read_optional(record, Field::SkipTo)?;
        let player_options_override = match optional_embedded(record, Field::PlayerOptionsOverride)? {
            Some(document) => Some(ContextPlayerOptionOverrides { document }),
            None => None,
        };
        let license = optional_text(record, Field::License)?;
        let seek_to = optional_u32(record, Field::SeekTo)?;
        let always_play_something = optional_flag(record, Field::AlwaysPlaySomething)?;
        let audio_stream = optional_text(record, Field::AudioStream)?;
        let initially_paused = optional_flag(record, Field::InitiallyPaused)?;
        let prefetch_level = optional_text(record, Field::PrefetchLevel)?;
        let system_initiated = optional_flag(record, Field::SystemInitiated)?;
        Ok(
            PlayOptions {
                skip_to,
                player_options_override,
                license,
                seek_to,
                always_play_something,
                audio_stream,
                initially_paused,
                prefetch_level,
                system_initiated,
            },
        )
    }

    /// Reads the record that the required member `field` of `object` holds.
    pub fn read(object: &Value, field: Field) -> (read: Result<PlayOptions, FieldError>)
        ensures
            outcome(read) == PlayOptionsView::read(json_of(*object), field),
    {
        let record = required_record(object, field)?;
        PlayOptions::from_members(record)
    }
}

impl OptionsOptionsView {
    /// The record that the members of `record` make.
    pub open spec fn from_members(record: JsonValue) -> Result<OptionsOptionsView, FieldError> {
        let only_for_local_device = record.required_flag(Field::OnlyForLocalDevice);
        let override_restrictions = record.required_flag(Field::OverrideRestrictions);
        let system_initiated = record.required_flag(Field::SystemInitiated);
        if only_for_local_device is Err {
            Err(only_for_local_device->Err_0)
        } else if override_restrictions is Err {
            Err(override_restrictions->Err_0)
        } else if system_initiated is Err {
            Err(system_initiated->Err_0)
        } else {
            Ok(
                OptionsOptionsView {
                    only_for_local_device: only_for_local_device->Ok_0,
                    override_restrictions: override_restrictions->Ok_0,
                    system_initiated: system_initiated->Ok_0,
                },
            )
        }
    }

    /// The record that the optional member `field` of `object` holds.
    pub open spec fn read_optional(object: JsonValue, field: Field) -> Result<
        Option<OptionsOptionsView>,
        FieldError,
    > {
        match object.optional_record(field) {
            Ok(Some(record)) => match OptionsOptionsView::from_members(record) {
                Ok(value) => Ok(Some(value)),
                Err(error) => Err(error),
            },
            Ok(None) => Ok(None),
            Err(error) => Err(error),
        }
    }
}

impl OptionsOptions {
    /// Decodes the record that the members of `record` make.
    fn from_members(record: &Value) -> (read: Result<OptionsOptions, FieldError>)
        ensures
            outcome(read) == OptionsOptionsView::from_members(json_of(*record)),
    {
        let only_for_local_device = required_flag(record, Field::OnlyForLocalDevice)?;
        let override_restrictions = required_flag(record, Field::OverrideRestrictions)?;
        let system_initiated = required_flag(record, Field::SystemInitiated)?;
        Ok(OptionsOptions { only_for_local_device, override_restrictions, system_initiated })
    }

    /// Reads the record that the optional member `field` of `object` holds.
    pub fn read_optional(
        object: &Value,
        field: Field,
    ) -> (read: Result<Option<OptionsOptions>, FieldError>)
        ensures
            outcome(read) == OptionsOptionsView::read_optional(json_of(*object), field),
    {
        match optional_record(object, field)? {
            Some(record) => Ok(Some(OptionsOptions::from_members(record)?)),
            None => Ok(None),
        }
    }
}

impl TransferCommandView {
    /// The payload that the members of `object` make.
    pub open spec fn from_json(object: JsonValue) -> Result<TransferCommandView, FieldError> {
        let data = object.optional_bytes(Field::Data);
        let options = TransferOptionsView::read(object, Field::Options);
        let from_device_identifier = object.required_text(Field::FromDeviceIdentifier);
        let logging_params = LoggingParamsView::read(object, Field::LoggingParams);
        if data is Err {
            Err(data->Err_0)
        } else if options is Err {
            Err(options->Err_0)
        } else if from_device_identifier is Err {
            Err(from_device_identifier->Err_0)
        } else if logging_params is Err {
            Err(logging_params->Err_0)
        } else {
            Ok(
                TransferCommandView {
                    data: data->Ok_0,
                    options: options->Ok_0,
                    from_device_identifier: from_device_identifier->Ok_0,
                    logging_params: logging_params->Ok_0,
                },
            )
        }
    }
}

impl TransferCommand {
    /// Decodes the payload that the members of `object` make.
    pub fn from_json(object: &Value) -> (read: Result<TransferCommand, FieldError>)
        ensures
            outcome(read) == TransferCommandView::from_json(json_of(*object)),
    {
        let data = match optional_bytes(object, Field::Data)? {
            Some(bytes) => Some(TransferState { bytes }),
            None => None,
        };
        let options = TransferOptions::read(object, Field::Options)?;
        let from_device_identifier = required_text(object, Field::FromDeviceIdentifier)?;
        let logging_params = LoggingParams::read(object, Field::LoggingParams)?;
        Ok(TransferCommand { data, options, from_device_identifier, logging_params })
    }
}

impl PlayCommandView {
    /// The payload that the members of `object` make.
    pub open spec fn from_json(object: JsonValue) -> Result<PlayCommandView, FieldError> {
        let context = object.required_embedded(Field::Context);
        let play_origin = object.required_embedded(Field::PlayOrigin);
        let options = PlayOptionsView::read(object, Field::Options);
        let logging_params = LoggingParamsView::read(object, Field::LoggingParams);
        if context is Err {
            Err(context->Err_0)
        } else if play_origin is Err {
            Err(play_origin->Err_0)
        } else if options is Err {
            Err(options->Err_0)
        } else if logging_params is Err {
            Err(logging_params->Err_0)
        } else {
            Ok(
                PlayCommandView {
                    context: context->Ok_0,
                    play_origin: play_origin->Ok_0,
                    options: options->Ok_0,
                    logging_params: logging_params->Ok_0,
                },
            )
        }
    }
}

impl PlayCommand {
    /// Decodes the payload that the members of `object` make.
    pub fn from_json(object: &Value) -> (read: Result<PlayCommand, FieldError>)
        ensures
            outcome(read) == PlayCommandView::from_json(json_of(*object)),
    {
        let context = Context { document: required_embedded(object, Field::Context)? };
        let play_origin = PlayOrigin { document: required_embedded(object, Field::PlayOrigin)? };
        let options = PlayOptions::read(object, Field::Options)?;
        let logging_params = LoggingParams::read(object, Field::LoggingParams)?;
        Ok(PlayCommand { context, play_origin, options, logging_params })
    }
}

impl PauseCommandView {
    /// The payload that the members of `object` make.
    pub open spec fn from_json(object: JsonValue) -> Result<PauseCommandView, FieldError> {
        let logging_params = LoggingParamsView::read(object, Field::LoggingParams);
        if logging_params is Err {
            Err(logging_params->Err_0)
        } else {
            Ok(
                PauseCommandView {
                    logging_params: logging_params->Ok_0,
                },
            )
        }
    }
}

impl PauseCommand {
    /// Decodes the payload that the members of `object` make.
    pub fn from_json(object: &Value) -> (read: Result<PauseCommand, FieldError>)
        ensures
            outcome(read) == PauseCommandView::from_json(json_of(*object)),
    {
        let logging_params = LoggingParams::read(object, Field::LoggingParams)?;
        Ok(PauseCommand { logging_params })
    }
}

impl SeekToCommandView {
    /// The payload that the members of `object` make.
    pub open spec fn from_json(object: JsonValue) -> Result<SeekToCommandView, FieldError> {
        let value = object.required_u32(Field::Value);
        let position = object.required_u32(Field::Position);
        let logging_params = LoggingParamsView::read(object, Field::LoggingParams);
        if value is Err {
            Err(value->Err_0)
        } else if position is Err {
            Err(position->Err_0)
        } else if logging_params is Err {
            Err(logging_params->Err_0)
        } else {
            Ok(
                SeekToCommandView {
                    value: value->Ok_0,
                    position: position->Ok_0,
                    logging_params: logging_params->Ok_0,
                },
            )
        }
    }
}

impl SeekToCommand {
    /// Decodes the payload that the members of `object` make.
    pub fn from_json(object: &Value) -> (read: Result<SeekToCommand, FieldError>)
        ensures
            outcome(read) == SeekToCommandView::from_json(json_of(*object)),
    {
        let value = required_u32(object, Field::Value)?;
        let position = required_u32(object, Field::Position)?;
        let logging_params = LoggingParams::read(object, Field::LoggingParams)?;
        Ok(SeekToCommand { value, position, logging_params })
    }
}

impl SkipNextCommandView {
    /// The payload that the members of `object` make.
    pub open spec fn from_json(object: JsonValue) -> Result<SkipNextCommandView, FieldError> {
        let track = object.optional_embedded(Field::Track);
        let logging_params = LoggingParamsView::read(object, Field::LoggingParams);
        if track is Err {
            Err(track->Err_0)
        } else if logging_params is Err {
            Err(logging_params->Err_0)
        } else {
            Ok(
                SkipNextCommandView {
                    track: track->Ok_0,
                    logging_params: logging_params->Ok_0,
                },
            )
        }
    }
}

impl SkipNextCommand {
    /// Decodes the payload that the members of `object` make.
    pub fn from_json(object: &Value) -> (read: Result<SkipNextCommand, FieldError>)
        ensures
            outcome(read) == SkipNextCommandView::from_json(json_of(*object)),
    {
        let track = match optional_embedded(object, Field::Track)? {
            Some(document) => Some(ProvidedTrack { document }),
            None => None,
        };
        let logging_params = LoggingParams::read(object, Field::LoggingParams)?;
        Ok(SkipNextCommand { track, logging_params })
    }
}

impl SetValueCommandView {
    /// The payload that the members of `object` make.
    pub open spec fn from_json(object: JsonValue) -> Result<SetValueCommandView, FieldError> {
        let value = object.required_flag(Field::Value);
        let logging_params = LoggingParamsView::read(object, Field::LoggingParams);
        if value is Err {
            Err(value->Err_0)
        } else if logging_params is Err {
            Err(logging_params->Err_0)
        } else {
            Ok(
                SetValueCommandView {
                    value: value->Ok_0,
                    logging_params: logging_params->Ok_0,
                },
            )
        }
    }
}

impl SetValueCommand {
    /// Decodes the payload that the members of `object` make.
    pub fn from_json(object: &Value) -> (read: Result<SetValueCommand, FieldError>)
        ensures
            outcome(read) == SetValueCommandView::from_json(json_of(*object)),
    {
        let value = required_flag(object, Field::Value)?;
        let logging_params = LoggingParams::read(object, Field::LoggingParams)?;
        Ok(SetValueCommand { value, logging_params })
    }
}

impl AddToQueueCommandView {
    /// The payload that the members of `object` make.
    pub open spec fn from_json(object: JsonValue) -> Result<AddToQueueCommandView, FieldError> {
        let track = object.required_embedded(Field::Track);
        let logging_params = LoggingParamsView::read(object, Field::LoggingParams);
        if track is Err {
            Err(track->Err_0)
        } else if logging_params is Err {
            Err(logging_params->Err_0)
        } else {
            Ok(
                AddToQueueCommandView {
                    track: track->Ok_0,
                    logging_params: logging_params->Ok_0,
                },
            )
        }
    }
}

impl AddToQueueCommand {
    /// Decodes the payload that the members of `object` make.
    pub fn from_json(object: &Value) -> (read: Result<AddToQueueCommand, FieldError>)
        ensures
            outcome(read) == AddToQueueCommandView::from_json(json_of(*object)),
    {
        let track = ProvidedTrack { document: required_embedded(object, Field::Track)? };
        let logging_params = LoggingParams::read(object, Field::LoggingParams)?;
        Ok(AddToQueueCommand { track, logging_params })
    }
}

impl SetQueueCommandView {
    /// The payload that the members of `object` make.
    pub open spec fn from_json(object: JsonValue) -> Result<SetQueueCommandView, FieldError> {
        let next_tracks = object.required_embedded_list(Field::NextTracks);
        let prev_tracks = object.required_embedded_list(Field::PrevTracks);
        let queue_revision = object.required_text(Field::QueueRevision);
        let logging_params = LoggingParamsView::read(object, Field::LoggingParams);
        if next_tracks is Err {
            Err(next_tracks->Err_0)
        } else if prev_tracks is Err {
            Err(prev_tracks->Err_0)
        } else if queue_revision is Err {
            Err(queue_revision->Err_0)
        } else if logging_params is Err {
            Err(logging_params->Err_0)
        } else {
            Ok(
                SetQueueCommandView {
                    next_tracks: next_tracks->Ok_0,
                    prev_tracks: prev_tracks->Ok_0,
                    queue_revision: queue_revision->Ok_0,
                    logging_params: logging_params->Ok_0,
                },
            )
        }
    }
}

impl SetQueueCommand {
    /// Decodes the payload that the members of `object` make.
    pub fn from_json(object: &Value) -> (read: Result<SetQueueCommand, FieldError>)
        ensures
            outcome(read) == SetQueueCommandView::from_json(json_of(*object)),
    {
        let next_tracks = required_tracks(object, Field::NextTracks)?;
        let prev_tracks = required_tracks(object, Field::PrevTracks)?;
        let queue_revision = required_text(object, Field::QueueRevision)?;
        let logging_params = LoggingParams::read(object, Field::LoggingParams)?;
        Ok(SetQueueCommand { next_tracks, prev_tracks, queue_revision, logging_params })
    }
}

impl SetOptionsCommandView {
    /// The payload that the members of `object` make.
    pub open spec fn from_json(object: JsonValue) -> Result<SetOptionsCommandView, FieldError> {
        let shuffling_context = object.optional_flag(Field::ShufflingContext);
        let repeating_context = object.optional_flag(Field::RepeatingContext);
        let repeating_track = object.optional_flag(Field::RepeatingTrack);
        let options = OptionsOptionsView::read_optional(object, Field::Options);
        let logging_params = LoggingParamsView::read(object, Field::LoggingParams);
        if shuffling_context is Err {
            Err(shuffling_context->Err_0)
        } else if repeating_context is Err {
            Err(repeating_context->Err_0)
        } else if repeating_track is Err {
            Err(repeating_track->Err_0)
        } else if options is Err {
            Err(options->Err_0)
        } else if logging_params is Err {
            Err(logging_params->Err_0)
        } else {
            Ok(
                SetOptionsCommandView {
                    shuffling_context: shuffling_context->Ok_0,
                    repeating_context: repeating_context->Ok_0,
                    repeating_track: repeating_track->Ok_0,
                    options: options->Ok_0,
                    logging_params: logging_params->Ok_0,
                },
            )
        }
    }
}

impl SetOptionsCommand {
    /// Decodes the payload that the members of `object` make.
    pub fn from_json(object: &Value) -> (read: Result<SetOptionsCommand, FieldError>)
        ensures
            outcome(read) == SetOptionsCommandView::from_json(json_of(*object)),
    {
        let shuffling_context = optional_flag(object, Field::ShufflingContext)?;
        let repeating_context = optional_flag(object, Field::RepeatingContext)?;
        let repeating_track = optional_flag(object, Field::RepeatingTrack)?;
        let options = OptionsOptions::read_optional(object, Field::Options)?;
        let logging_params = LoggingParams::read(object, Field::LoggingParams)?;
        Ok(
            SetOptionsCommand {
                shuffling_context,
                repeating_context,
                repeating_track,
                options,
                logging_params,
            },
        )
    }
}

impl UpdateContextCommandView {
    /// The payload that the members of `object` make.
    pub open spec fn from_json(object: JsonValue) -> Result<UpdateContextCommandView, FieldError> {
        let context = object.required_embedded(Field::Context);
        let session_id = object.optional_text(Field::SessionId);
        if context is Err {
            Err(context->Err_0)
        } else if session_id is Err {
            Err(session_id->Err_0)
        } else {
            Ok(
                UpdateContextCommandView {
                    context: context->Ok_0,
                    session_id: session_id->Ok_0,
                },
            )
        }
    }
}

impl UpdateContextCommand {
    /// Decodes the payload that the members of `object` make.
    pub fn from_json(object: &Value) -> (read: Result<UpdateContextCommand, FieldError>)
        ensures
            outcome(read) == UpdateContextCommandView::from_json(json_of(*object)),
    {
        let context = Context { document: required_embedded(object, Field::Context)? };
        let session_id = optional_text(object, Field::SessionId)?;
        Ok(UpdateContextCommand { context, session_id })
    }
}

impl GenericCommandView {
    /// The payload that the members of `object` make.
    pub open spec fn from_json(object: JsonValue) -> Result<GenericCommandView, FieldError> {
        let logging_params = LoggingParamsView::read(object, Field::LoggingParams);
        if logging_params is Err {
            Err(logging_params->Err_0)
        } else {
            Ok(
                GenericCommandView {
                    logging_params: logging_params->Ok_0,
                },
            )
        }
    }
}

impl GenericCommand {
    /// Decodes the payload that the members of `object` make.
    pub fn from_json(object: &Value) -> (read: Result<GenericCommand, FieldError>)
        ensures
            outcome(read) == GenericCommandView::from_json(json_of(*object)),
    {
        let logging_params = LoggingParams::read(object, Field::LoggingParams)?;
        Ok(GenericCommand { logging_params })
    }
}

} // verus!
