//! The members that the decoders read, by name.

use vstd::prelude::*;

verus! {

/// A member of the envelope, of a command or of one of the records inside a
/// command.
#[derive(Clone, Copy, Debug, PartialEq, Eq)]
pub enum Field {
    MessageId,
    SentByDeviceId,
    Command,
    Data,
    Options,
    FromDeviceIdentifier,
    LoggingParams,
    Context,
    PlayOrigin,
    Value,
    Position,
    Track,
    NextTracks,
    PrevTracks,
    QueueRevision,
    ShufflingContext,
    RepeatingContext,
    RepeatingTrack,
    SessionId,
    RestorePaused,
    RestorePosition,
    RestoreTrack,
    RetainSession,
    SkipTo,
    PlayerOptionsOverride,
    License,
    SeekTo,
    AlwaysPlaySomething,
    AudioStream,
    InitiallyPaused,
    PrefetchLevel,
    SystemInitiated,
    OnlyForLocalDevice,
    OverrideRestrictions,
    TrackUid,
    TrackUri,
    TrackIndex,
    InteractionIds,
    DeviceIdentifier,
    CommandInitiatedTime,
    PageInstanceIds,
    CommandId,
}

impl Field {
    /// The key under which the member stands in its JSON object.
    pub open spec fn key(self) -> Seq<char> {
        match self {
            Field::MessageId => "message_id"@,
            Field::SentByDeviceId => "sent_by_device_id"@,
            Field::Command => "command"@,
            Field::Data => "data"@,
            Field::Options => "options"@,
            Field::FromDeviceIdentifier => "from_device_identifier"@,
            Field::LoggingParams => "logging_params"@,
            Field::Context => "context"@,
            Field::PlayOrigin => "play_origin"@,
            Field::Value => "value"@,
            Field::Position => "position"@,
            Field::Track => "track"@,
            Field::NextTracks => "next_tracks"@,
            Field::PrevTracks => "prev_tracks"@,
            Field::QueueRevision => "queue_revision"@,
            Field::ShufflingContext => "shuffling_context"@,
            Field::RepeatingContext => "repeating_context"@,
            Field::RepeatingTrack => "repeating_track"@,
            Field::SessionId => "session_id"@,
            Field::RestorePaused => "restore_paused"@,
            Field::RestorePosition => "restore_position"@,
            Field::RestoreTrack => "restore_track"@,
            Field::RetainSession => "retain_session"@,
            Field::SkipTo => "skip_to"@,
            Field::PlayerOptionsOverride => "player_options_override"@,
            Field::License => "license"@,
            Field::SeekTo => "seek_to"@,
            Field::AlwaysPlaySomething => "always_play_something"@,
            Field::AudioStream => "audio_stream"@,
            Field::InitiallyPaused => "initially_paused"@,
            Field::PrefetchLevel => "prefetch_level"@,
            Field::SystemInitiated => "system_initiated"@,
            Field::OnlyForLocalDevice => "only_for_local_device"@,
            Field::OverrideRestrictions => "override_restrictions"@,
            Field::TrackUid => "track_uid"@,
            Field::TrackUri => "track_uri"@,
            Field::TrackIndex => "track_index"@,
            Field::InteractionIds => "interaction_ids"@,
            Field::DeviceIdentifier => "device_identifier"@,
            Field::CommandInitiatedTime => "command_initiated_time"@,
            Field::PageInstanceIds => "page_instance_ids"@,
            Field::CommandId => "command_id"@,
        }
    }

    /// The key under which the member stands in its JSON object.
    pub fn name(self) -> (name: &'static str)
        ensures
            name@ == self.key(),
    {
        match self {
            Field::MessageId => "message_id",
            Field::SentByDeviceId => "sent_by_device_id",
            Field::Command => "command",
            Field::Data => "data",
            Field::Options => "options",
            Field::FromDeviceIdentifier => "from_device_identifier",
            Field::LoggingParams => "logging_params",
            Field::Context => "context",
            Field::PlayOrigin => "play_origin",
            Field::Value => "value",
            Field::Position => "position",
            Field::Track => "track",
            Field::NextTracks => "next_tracks",
            Field::PrevTracks => "prev_tracks",
            Field::QueueRevision => "queue_revision",
            Field::ShufflingContext => "shuffling_context",
            Field::RepeatingContext => "repeating_context",
            Field::RepeatingTrack => "repeating_track",
            Field::SessionId => "session_id",
            Field::RestorePaused => "restore_paused",
            Field::RestorePosition => "restore_position",
            Field::RestoreTrack => "restore_track",
            Field::RetainSession => "retain_session",
            Field::SkipTo => "skip_to",
            Field::PlayerOptionsOverride => "player_options_override",
            Field::License => "license",
            Field::SeekTo => "seek_to",
            Field::AlwaysPlaySomething => "always_play_something",
            Field::AudioStream => "audio_stream",
            Field::InitiallyPaused => "initially_paused",
            Field::PrefetchLevel => "prefetch_level",
            Field::SystemInitiated => "system_initiated",
            Field::OnlyForLocalDevice => "only_for_local_device",
            Field::OverrideRestrictions => "override_restrictions",
            Field::TrackUid => "track_uid",
            Field::TrackUri => "track_uri",
            Field::TrackIndex => "track_index",
            Field::InteractionIds => "interaction_ids",
            Field::DeviceIdentifier => "device_identifier",
            Field::CommandInitiatedTime => "command_initiated_time",
            Field::PageInstanceIds => "page_instance_ids",
            Field::CommandId => "command_id",
        }
    }
}

} // verus!
