//! A decoded request, and what it is in the contracts.
//!
//! Each type has a mathematical counterpart, its deep view, in which texts
//! are sequences of characters and carried documents are [`JsonValue`]s. The
//! decoders' contracts speak of the deep views.

use crate::json::{json_of, JsonValue};
use crate::kind::CommandKind;
use crate::payload::{
    Context, ContextPlayerOptionOverrides, PlayOrigin, ProvidedTrack, TransferState,
};
use serde_json::Value;
use vstd::prelude::*;

verus! {

/// The envelope of a request: who sent it, its number, and the command.
#[derive(Clone, Debug, PartialEq, Eq)]
pub struct Request {
    pub message_id: u32,
    pub sent_by_device_id: String,
    pub command: Command,
}

/// A command. The kinds that the decoder knows have a payload of their own;
/// a command of any other kind is kept as the document that it came as.
#[derive(Clone, Debug, PartialEq, Eq)]
pub enum Command {
    Transfer(TransferCommand),
    Play(Box<PlayCommand>),
    Pause(PauseCommand),
    SeekTo(SeekToCommand),
    SetShufflingContext(SetValueCommand),
    SetRepeatingTrack(SetValueCommand),
    SetRepeatingContext(SetValueCommand),
    AddToQueue(AddToQueueCommand),
    SetQueue(SetQueueCommand),
    SetOptions(SetOptionsCommand),
    UpdateContext(UpdateContextCommand),
    SkipNext(SkipNextCommand),
    SkipPrev(GenericCommand),
    Resume(GenericCommand),
    /// A command of a kind that the decoder does not know.
    Unknown(Value),
}

/// Who issued a command, and when. Nothing here is interpreted: it is
/// handed on to whoever keeps the logs. Every member may be absent.
#[derive(Clone, Debug, PartialEq, Eq)]
pub struct LoggingParams {
    pub interaction_ids: Option<Vec<String>>,
    pub device_identifier: Option<String>,
    pub command_initiated_time: Option<i64>,
    pub page_instance_ids: Option<Vec<String>>,
    pub command_id: Option<String>,
}

/// How a transfer is to restore playback. The four members are texts, and
/// are kept as the texts they are: `"true"` is not turned into `true`.
#[derive(Clone, Debug, PartialEq, Eq)]
pub struct TransferOptions {
    pub restore_paused: String,
    pub restore_position: String,
    pub restore_track: String,
    pub retain_session: String,
}

/// The track at which a play command starts.
#[derive(Clone, Debug, PartialEq, Eq)]
pub struct SkipTo {
    pub track_uid: Option<String>,
    pub track_uri: Option<String>,
    pub track_index: Option<u32>,
}

/// The options of a play command. A controller sends the members that it
/// knows, so each may be absent whatever the others are.
#[derive(Clone, Debug, PartialEq, Eq)]
pub struct PlayOptions {
    pub skip_to: Option<SkipTo>,
    pub player_options_override: Option<ContextPlayerOptionOverrides>,
    pub license: Option<String>,
    pub seek_to: Option<u32>,
    pub always_play_something: Option<bool>,
    pub audio_stream: Option<String>,
    pub initially_paused: Option<bool>,
    pub prefetch_level: Option<String>,
    pub system_initiated: Option<bool>,
}

/// The nested options of a set-options command.
#[derive(Clone, Debug, PartialEq, Eq)]
pub struct OptionsOptions {
    pub only_for_local_device: bool,
    pub override_restrictions: bool,
    pub system_initiated: bool,
}

/// Playback moves to this device.
#[derive(Clone, Debug, PartialEq, Eq)]
pub struct TransferCommand {
    pub data: Option<TransferState>,
    pub options: TransferOptions,
    pub from_device_identifier: String,
    pub logging_params: LoggingParams,
}

/// A context is to be played.
#[derive(Clone, Debug, PartialEq, Eq)]
pub struct PlayCommand {
    pub context: Context,
    pub play_origin: PlayOrigin,
    pub options: PlayOptions,
    pub logging_params: LoggingParams,
}

/// Playback is to pause.
#[derive(Clone, Debug, PartialEq, Eq)]
pub struct PauseCommand {
    pub logging_params: LoggingParams,
}

/// Playback is to continue at another position.
#[derive(Clone, Debug, PartialEq, Eq)]
pub struct SeekToCommand {
    pub value: u32,
    pub position: u32,
    pub logging_params: LoggingParams,
}

/// Playback is to skip forward, to the given track if there is one.
#[derive(Clone, Debug, PartialEq, Eq)]
pub struct SkipNextCommand {
    pub track: Option<ProvidedTrack>,
    pub logging_params: LoggingParams,
}

/// A switch is to be set. Shuffling, repeating the track and repeating the
/// context each have a command of this shape.
#[derive(Clone, Debug, PartialEq, Eq)]
pub struct SetValueCommand {
    pub value: bool,
    pub logging_params: LoggingParams,
}

/// A track is to be added to the queue.
#[derive(Clone, Debug, PartialEq, Eq)]
pub struct AddToQueueCommand {
    pub track: ProvidedTrack,
    pub logging_params: LoggingParams,
}

/// The queue is to be replaced.
///
/// The revision is the one that the sender last saw. It may be out of date
/// when the command arrives; it is handed on as it came.
#[derive(Clone, Debug, PartialEq, Eq)]
pub struct SetQueueCommand {
    pub next_tracks: Vec<ProvidedTrack>,
    pub prev_tracks: Vec<ProvidedTrack>,
    pub queue_revision: String,
    pub logging_params: LoggingParams,
}

/// Several switches are to be set at once. The three switches and the
/// nested options do not depend on each other: any of them may be absent.
#[derive(Clone, Debug, PartialEq, Eq)]
pub struct SetOptionsCommand {
    pub shuffling_context: Option<bool>,
    pub repeating_context: Option<bool>,
    pub repeating_track: Option<bool>,
    pub options: Option<OptionsOptions>,
    pub logging_params: LoggingParams,
}

/// The context that is playing has changed. This command carries no
/// logging parameters.
#[derive(Clone, Debug, PartialEq, Eq)]
pub struct UpdateContextCommand {
    pub context: Context,
    pub session_id: Option<String>,
}

/// A command that carries nothing but its logging parameters.
#[derive(Clone, Debug, PartialEq, Eq)]
pub struct GenericCommand {
    pub logging_params: LoggingParams,
}

/// What a [`Request`] is in the contracts.
pub struct RequestView {
    pub message_id: u32,
    pub sent_by_device_id: Seq<char>,
    pub command: CommandView,
}

/// What a [`Command`] is in the contracts.
pub enum CommandView {
    Transfer(TransferCommandView),
    Play(PlayCommandView),
    Pause(PauseCommandView),
    SeekTo(SeekToCommandView),
    SetShufflingContext(SetValueCommandView),
    SetRepeatingTrack(SetValueCommandView),
    SetRepeatingContext(SetValueCommandView),
    AddToQueue(AddToQueueCommandView),
    SetQueue(SetQueueCommandView),
    SetOptions(SetOptionsCommandView),
    UpdateContext(UpdateContextCommandView),
    SkipNext(SkipNextCommandView),
    SkipPrev(GenericCommandView),
    Resume(GenericCommandView),
    Unknown(JsonValue),
}

/// What a [`LoggingParams`] is in the contracts.
pub struct LoggingParamsView {
    pub interaction_ids: Option<Seq<Seq<char>>>,
    pub device_identifier: Option<Seq<char>>,
    pub command_initiated_time: Option<i64>,
    pub page_instance_ids: Option<Seq<Seq<char>>>,
    pub command_id: Option<Seq<char>>,
}

/// What a [`TransferOptions`] is in the contracts.
pub struct TransferOptionsView {
    pub restore_paused: Seq<char>,
    pub restore_position: Seq<char>,
    pub restore_track: Seq<char>,
    pub retain_session: Seq<char>,
}

/// What a [`SkipTo`] is in the contracts.
pub struct SkipToView {
    pub track_uid: Option<Seq<char>>,
    pub track_uri: Option<Seq<char>>,
    pub track_index: Option<u32>,
}

/// What a [`PlayOptions`] is in the contracts.
pub struct PlayOptionsView {
    pub skip_to: Option<SkipToView>,
    pub player_options_override: Option<JsonValue>,
    pub license: Option<Seq<char>>,
    pub seek_to: Option<u32>,
    pub always_play_something: Option<bool>,
    pub audio_stream: Option<Seq<char>>,
    pub initially_paused: Option<bool>,
    pub prefetch_level: Option<Seq<char>>,
    pub system_initiated: Option<bool>,
}

/// What a [`OptionsOptions`] is in the contracts.
pub struct OptionsOptionsView {
    pub only_for_local_device: bool,
    pub override_restrictions: bool,
    pub system_initiated: bool,
}

/// What a [`TransferCommand`] is in the contracts.
pub struct TransferCommandView {
    pub data: Option<Seq<u8>>,
    pub options: TransferOptionsView,
    pub from_device_identifier: Seq<char>,
    pub logging_params: LoggingParamsView,
}

/// What a [`PlayCommand`] is in the contracts.
pub struct PlayCommandView {
    pub context: JsonValue,
    pub play_origin: JsonValue,
    pub options: PlayOptionsView,
    pub logging_params: LoggingParamsView,
}

/// What a [`PauseCommand`] is in the contracts.
pub struct PauseCommandView {
    pub logging_params: LoggingParamsView,
}

/// What a [`SeekToCommand`] is in the contracts.
pub struct SeekToCommandView {
    pub value: u32,
    pub position: u32,
    pub logging_params: LoggingParamsView,
}

/// What a [`SkipNextCommand`] is in the contracts.
pub struct SkipNextCommandView {
    pub track: Option<JsonValue>,
    pub logging_params: LoggingParamsView,
}

/// What a [`SetValueCommand`] is in the contracts.
pub struct SetValueCommandView {
    pub value: bool,
    pub logging_params: LoggingParamsView,
}

/// What a [`AddToQueueCommand`] is in the contracts.
pub struct AddToQueueCommandView {
    pub track: JsonValue,
    pub logging_params: LoggingParamsView,
}

/// What a [`SetQueueCommand`] is in the contracts.
pub struct SetQueueCommandView {
    pub next_tracks: Seq<JsonValue>,
    pub prev_tracks: Seq<JsonValue>,
    pub queue_revision: Seq<char>,
    pub logging_params: LoggingParamsView,
}

/// What a [`SetOptionsCommand`] is in the contracts.
pub struct SetOptionsCommandView {
    pub shuffling_context: Option<bool>,
    pub repeating_context: Option<bool>,
    pub repeating_track: Option<bool>,
    pub options: Option<OptionsOptionsView>,
    pub logging_params: LoggingParamsView,
}

/// What a [`UpdateContextCommand`] is in the contracts.
pub struct UpdateContextCommandView {
    pub context: JsonValue,
    pub session_id: Option<Seq<char>>,
}

/// What a [`GenericCommand`] is in the contracts.
pub struct GenericCommandView {
    pub logging_params: LoggingParamsView,
}

impl DeepView for Request {
    type V = RequestView;

    open spec fn deep_view(&self) -> RequestView {
        RequestView {
            message_id: self.message_id,
            sent_by_device_id: self.sent_by_device_id@,
            command: self.command.deep_view(),
        }
    }
}

impl DeepView for Command {
    type V = CommandView;

    open spec fn deep_view(&self) -> CommandView {
        match self {
            Command::Transfer(payload) => CommandView::Transfer(payload.deep_view()),
            Command::Play(payload) => CommandView::Play(payload.deep_view()),
            Command::Pause(payload) => CommandView::Pause(payload.deep_view()),
            Command::SeekTo(payload) => CommandView::SeekTo(payload.deep_view()),
            Command::SetShufflingContext(payload) => CommandView::SetShufflingContext(
                payload.deep_view(),
            ),
            Command::SetRepeatingTrack(payload) => CommandView::SetRepeatingTrack(
                payload.deep_view(),
            ),
            Command::SetRepeatingContext(payload) => CommandView::SetRepeatingContext(
                payload.deep_view(),
            ),
            Command::AddToQueue(payload) => CommandView::AddToQueue(payload.deep_view()),
            Command::SetQueue(payload) => CommandView::SetQueue(payload.deep_view()),
            Command::SetOptions(payload) => CommandView::SetOptions(payload.deep_view()),
            Command::UpdateContext(payload) => CommandView::UpdateContext(payload.deep_view()),
            Command::SkipNext(payload) => CommandView::SkipNext(payload.deep_view()),
            Command::SkipPrev(payload) => CommandView::SkipPrev(payload.deep_view()),
            Command::Resume(payload) => CommandView::Resume(payload.deep_view()),
            Command::Unknown(document) => CommandView::Unknown(json_of(*document)),
        }
    }
}

impl DeepView for LoggingParams {
    type V = LoggingParamsView;

    open spec fn deep_view(&self) -> LoggingParamsView {
        LoggingParamsView {
            interaction_ids: self.interaction_ids.deep_view(),
            device_identifier: self.device_identifier.deep_view(),
            command_initiated_time: self.command_initiated_time.deep_view(),
            page_instance_ids: self.page_instance_ids.deep_view(),
            command_id: self.command_id.deep_view(),
        }
    }
}

impl DeepView for TransferOptions {
    type V = TransferOptionsView;

    open spec fn deep_view(&self) -> TransferOptionsView {
        TransferOptionsView {
            restore_paused: self.restore_paused.deep_view(),
            restore_position: self.restore_position.deep_view(),
            restore_track: self.restore_track.deep_view(),
            retain_session: self.retain_session.deep_view(),
        }
    }
}

impl DeepView for SkipTo {
    type V = SkipToView;

    open spec fn deep_view(&self) -> SkipToView {
        SkipToView {
            track_uid: self.track_uid.deep_view(),
            track_uri: self.track_uri.deep_view(),
            track_index: self.track_index.deep_view(),
        }
    }
}

impl DeepView for PlayOptions {
    type V = PlayOptionsView;

    open spec fn deep_view(&self) -> PlayOptionsView {
        PlayOptionsView {
            skip_to: self.skip_to.deep_view(),
            player_options_override: self.player_options_override.deep_view(),
            license: self.license.deep_view(),
            seek_to: self.seek_to.deep_view(),
            always_play_something: self.always_play_something.deep_view(),
            audio_stream: self.audio_stream.deep_view(),
            initially_paused: self.initially_paused.deep_view(),
            prefetch_level: self.prefetch_level.deep_view(),
            system_initiated: self.system_initiated.deep_view(),
        }
    }
}

impl DeepView for OptionsOptions {
    type V = OptionsOptionsView;

    open spec fn deep_view(&self) -> OptionsOptionsView {
        OptionsOptionsView {
            only_for_local_device: self.only_for_local_device.deep_view(),
            override_restrictions: self.override_restrictions.deep_view(),
            system_initiated: self.system_initiated.deep_view(),
        }
    }
}

impl DeepView for TransferCommand {
    type V = TransferCommandView;

    open spec fn deep_view(&self) -> TransferCommandView {
        TransferCommandView {
            data: self.data.deep_view(),
            options: self.options.deep_view(),
            from_device_identifier: self.from_device_identifier.deep_view(),
            logging_params: self.logging_params.deep_view(),
        }
    }
}

impl DeepView for PlayCommand {
    type V = PlayCommandView;

    open spec fn deep_view(&self) -> PlayCommandView {
        PlayCommandView {
            context: self.context.deep_view(),
            play_origin: self.play_origin.deep_view(),
            options: self.options.deep_view(),
            logging_params: self.logging_params.deep_view(),
        }
    }
}

impl DeepView for PauseCommand {
    type V = PauseCommandView;

    open spec fn deep_view(&self) -> PauseCommandView {
        PauseCommandView {
            logging_params: self.logging_params.deep_view(),
        }
    }
}

impl DeepView for SeekToCommand {
    type V = SeekToCommandView;

    open spec fn deep_view(&self) -> SeekToCommandView {
        SeekToCommandView {
            value: self.value.deep_view(),
            position: self.position.deep_view(),
            logging_params: self.logging_params.deep_view(),
        }
    }
}

impl DeepView for SkipNextCommand {
    type V = SkipNextCommandView;

    open spec fn deep_view(&self) -> SkipNextCommandView {
        SkipNextCommandView {
            track: self.track.deep_view(),
            logging_params: self.logging_params.deep_view(),
        }
    }
}

impl DeepView for SetValueCommand {
    type V = SetValueCommandView;

    open spec fn deep_view(&self) -> SetValueCommandView {
        SetValueCommandView {
            value: self.value.deep_view(),
            logging_params: self.logging_params.deep_view(),
        }
    }
}

impl DeepView for AddToQueueCommand {
    type V = AddToQueueCommandView;

    open spec fn deep_view(&self) -> AddToQueueCommandView {
        AddToQueueCommandView {
            track: self.track.deep_view(),
            logging_params: self.logging_params.deep_view(),
        }
    }
}

impl DeepView for SetQueueCommand {
    type V = SetQueueCommandView;

    open spec fn deep_view(&self) -> SetQueueCommandView {
        SetQueueCommandView {
            next_tracks: self.next_tracks.deep_view(),
            prev_tracks: self.prev_tracks.deep_view(),
            queue_revision: self.queue_revision.deep_view(),
            logging_params: self.logging_params.deep_view(),
        }
    }
}

impl DeepView for SetOptionsCommand {
    type V = SetOptionsCommandView;

    open spec fn deep_view(&self) -> SetOptionsCommandView {
        SetOptionsCommandView {
            shuffling_context: self.shuffling_context.deep_view(),
            repeating_context: self.repeating_context.deep_view(),
            repeating_track: self.repeating_track.deep_view(),
            options: self.options.deep_view(),
            logging_params: self.logging_params.deep_view(),
        }
    }
}

impl DeepView for UpdateContextCommand {
    type V = UpdateContextCommandView;

    open spec fn deep_view(&self) -> UpdateContextCommandView {
        UpdateContextCommandView {
            context: self.context.deep_view(),
            session_id: self.session_id.deep_view(),
        }
    }
}

impl DeepView for GenericCommand {
    type V = GenericCommandView;

    open spec fn deep_view(&self) -> GenericCommandView {
        GenericCommandView {
            logging_params: self.logging_params.deep_view(),
        }
    }
}

impl CommandView {
    /// The kind of a command of a known kind.
    pub open spec fn kind(self) -> Option<CommandKind> {
        match self {
            CommandView::Transfer(_) => Some(CommandKind::Transfer),
            CommandView::Play(_) => Some(CommandKind::Play),
            CommandView::Pause(_) => Some(CommandKind::Pause),
            CommandView::SeekTo(_) => Some(CommandKind::SeekTo),
            CommandView::SetShufflingContext(_) => Some(CommandKind::SetShufflingContext),
            CommandView::SetRepeatingTrack(_) => Some(CommandKind::SetRepeatingTrack),
            CommandView::SetRepeatingContext(_) => Some(CommandKind::SetRepeatingContext),
            CommandView::AddToQueue(_) => Some(CommandKind::AddToQueue),
            CommandView::SetQueue(_) => Some(CommandKind::SetQueue),
            CommandView::SetOptions(_) => Some(CommandKind::SetOptions),
            CommandView::UpdateContext(_) => Some(CommandKind::UpdateContext),
            CommandView::SkipNext(_) => Some(CommandKind::SkipNext),
            CommandView::SkipPrev(_) => Some(CommandKind::SkipPrev),
            CommandView::Resume(_) => Some(CommandKind::Resume),
            CommandView::Unknown(_) => None,
        }
    }
}

impl Command {
    /// The kind of a command of a known kind, and `None` for a command that
    /// was kept as a document.
    pub fn kind(&self) -> (kind: Option<CommandKind>)
        ensures
            kind == self.deep_view().kind(),
    {
        match self {
            Command::Transfer(_) => Some(CommandKind::Transfer),
            Command::Play(_) => Some(CommandKind::Play),
            Command::Pause(_) => Some(CommandKind::Pause),
            Command::SeekTo(_) => Some(CommandKind::SeekTo),
            Command::SetShufflingContext(_) => Some(CommandKind::SetShufflingContext),
            Command::SetRepeatingTrack(_) => Some(CommandKind::SetRepeatingTrack),
            Command::SetRepeatingContext(_) => Some(CommandKind::SetRepeatingContext),
            Command::AddToQueue(_) => Some(CommandKind::AddToQueue),
            Command::SetQueue(_) => Some(CommandKind::SetQueue),
            Command::SetOptions(_) => Some(CommandKind::SetOptions),
            Command::UpdateContext(_) => Some(CommandKind::UpdateContext),
            Command::SkipNext(_) => Some(CommandKind::SkipNext),
            Command::SkipPrev(_) => Some(CommandKind::SkipPrev),
            Command::Resume(_) => Some(CommandKind::Resume),
            Command::Unknown(_) => None,
        }
    }
}

} // verus!
