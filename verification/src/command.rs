//! Telling the kind of a command, decoding it, and naming it in a log.
//!
//! The `endpoint` member of a command names its kind. Where it names a kind
//! that the decoder knows, the command is decoded as that kind, and a
//! payload that cannot be decoded is an error. Any other document is kept
//! whole as [`Command::Unknown`]: one whose `endpoint` names no known kind,
//! one whose `endpoint` is not a text, one that has none. That never fails.

use crate::error::{DecodeFailure, FieldError};
use crate::json::{json_of, member, JsonValue};
use crate::kind::{kind_of, CommandKind};
use crate::read::outcome;
use crate::request::{
    AddToQueueCommand, AddToQueueCommandView, Command, CommandView, GenericCommand,
    GenericCommandView, PauseCommand, PauseCommandView, PlayCommand, PlayCommandView,
    SeekToCommand, SeekToCommandView, SetOptionsCommand, SetOptionsCommandView, SetQueueCommand,
    SetQueueCommandView, SetValueCommand, SetValueCommandView, SkipNextCommand,
    SkipNextCommandView, TransferCommand, TransferCommandView, UpdateContextCommand,
    UpdateContextCommandView,
};
use serde_json::Value;
use vstd::prelude::*;
use vstd::string::*;

verus! {

/// The text of the `endpoint` member of a document, where it has one.
pub open spec fn endpoint_of(document: JsonValue) -> Option<Seq<char>> {
    match document.member("endpoint"@) {
        Some(JsonValue::Text(name)) => Some(name),
        _ => None,
    }
}

/// The label of a command whose `endpoint` cannot be read.
pub open spec fn placeholder() -> Seq<char> {
    "???"@
}

impl CommandView {
    /// The command of the known kind `kind` that the members of `object`
    /// make.
    pub open spec fn payload(
        kind: CommandKind,
        object: JsonValue,
    ) -> Result<CommandView, FieldError> {
        match kind {
            CommandKind::Transfer => match TransferCommandView::from_json(object) {
                Ok(payload) => Ok(CommandView::Transfer(payload)),
                Err(error) => Err(error),
            },
            CommandKind::Play => match PlayCommandView::from_json(object) {
                Ok(payload) => Ok(CommandView::Play(payload)),
                Err(error) => Err(error),
            },
            CommandKind::Pause => match PauseCommandView::from_json(object) {
                Ok(payload) => Ok(CommandView::Pause(payload)),
                Err(error) => Err(error),
            },
            CommandKind::SeekTo => match SeekToCommandView::from_json(object) {
                Ok(payload) => Ok(CommandView::SeekTo(payload)),
                Err(error) => Err(error),
            },
            CommandKind::SetShufflingContext => match SetValueCommandView::from_json(object) {
                Ok(payload) => Ok(CommandView::SetShufflingContext(payload)),
                Err(error) => Err(error),
            },
            CommandKind::SetRepeatingTrack => match SetValueCommandView::from_json(object) {
                Ok(payload) => Ok(CommandView::SetRepeatingTrack(payload)),
                Err(error) => Err(error),
            },
            CommandKind::SetRepeatingContext => match SetValueCommandView::from_json(object) {
                Ok(payload) => Ok(CommandView::SetRepeatingContext(payload)),
                Err(error) => Err(error),
            },
            CommandKind::AddToQueue => match AddToQueueCommandView::from_json(object) {
                Ok(payload) => Ok(CommandView::AddToQueue(payload)),
                Err(error) => Err(error),
            },
            CommandKind::SetQueue => match SetQueueCommandView::from_json(object) {
                Ok(payload) => Ok(CommandView::SetQueue(payload)),
                Err(error) => Err(error),
            },
            CommandKind::SetOptions => match SetOptionsCommandView::from_json(object) {
                Ok(payload) => Ok(CommandView::SetOptions(payload)),
                Err(error) => Err(error),
            },
            CommandKind::UpdateContext => match UpdateContextCommandView::from_json(object) {
                Ok(payload) => Ok(CommandView::UpdateContext(payload)),
                Err(error) => Err(error),
            },
            CommandKind::SkipNext => match SkipNextCommandView::from_json(object) {
                Ok(payload) => Ok(CommandView::SkipNext(payload)),
                Err(error) => Err(error),
            },
            CommandKind::SkipPrev => match GenericCommandView::from_json(object) {
                Ok(payload) => Ok(CommandView::SkipPrev(payload)),
                Err(error) => Err(error),
            },
            CommandKind::Resume => match GenericCommandView::from_json(object) {
                Ok(payload) => Ok(CommandView::Resume(payload)),
                Err(error) => Err(error),
            },
        }
    }

    /// The command that a document is.
    pub open spec fn from_json(document: JsonValue) -> Result<CommandView, DecodeFailure> {
        match endpoint_of(document) {
            Some(name) => match kind_of(name) {
                Some(kind) => match CommandView::payload(kind, document) {
                    Ok(command) => Ok(command),
                    Err(error) => Err(DecodeFailure::Payload(kind, error)),
                },
                None => Ok(CommandView::Unknown(document)),
            },
            None => Ok(CommandView::Unknown(document)),
        }
    }

    /// The label of a command: the `endpoint` text of its kind. For a
    /// command that was kept as a document it is the text of the document's
    /// `endpoint` member, and `???` where that cannot be read.
    pub open spec fn label(self) -> Seq<char> {
        match self {
            CommandView::Unknown(document) => match endpoint_of(document) {
                Some(name) => name,
                None => placeholder(),
            },
            _ => self.kind()->Some_0.endpoint(),
        }
    }

    /// The line that names a command in a log: `endpoint: ` and the label,
    /// with `unknown ` between them for a command that was kept as a
    /// document.
    pub open spec fn description(self) -> Seq<char> {
        if self is Unknown {
            "endpoint: "@ + "unknown "@ + self.label()
        } else {
            "endpoint: "@ + self.label()
        }
    }
}

/// Reads the text of the `endpoint` member of a document.
pub fn read_endpoint<'a>(document: &'a Value) -> (name: Option<&'a str>)
    ensures
        match name {
            Some(name) => endpoint_of(json_of(*document)) == Some(name@),
            None => endpoint_of(json_of(*document)) is None,
        },
{
    match member(document, "endpoint") {
        Some(holder) => holder.as_str(),
        None => None,
    }
}

impl Command {
    /// Decodes the command of the known kind `kind` that the members of
    /// `object` make.
    pub fn payload(kind: CommandKind, object: &Value) -> (read: Result<Command, FieldError>)
        ensures
            outcome(read) == CommandView::payload(kind, json_of(*object)),
    {
        match kind {
            CommandKind::Transfer => match TransferCommand::from_json(object) {
                Ok(payload) => Ok(Command::Transfer(payload)),
                Err(error) => Err(error),
            },
            CommandKind::Play => match PlayCommand::from_json(object) {
                Ok(payload) => Ok(Command::Play(Box::new(payload))),
                Err(error) => Err(error),
            },
            CommandKind::Pause => match PauseCommand::from_json(object) {
                Ok(payload) => Ok(Command::Pause(payload)),
                Err(error) => Err(error),
            },
            CommandKind::SeekTo => match SeekToCommand::from_json(object) {
                Ok(payload) => Ok(Command::SeekTo(payload)),
                Err(error) => Err(error),
            },
            CommandKind::SetShufflingContext => match SetValueCommand::from_json(object) {
                Ok(payload) => Ok(Command::SetShufflingContext(payload)),
                Err(error) => Err(error),
            },
            CommandKind::SetRepeatingTrack => match SetValueCommand::from_json(object) {
                Ok(payload) => Ok(Command::SetRepeatingTrack(payload)),
                Err(error) => Err(error),
            },
            CommandKind::SetRepeatingContext => match SetValueCommand::from_json(object) {
                Ok(payload) => Ok(Command::SetRepeatingContext(payload)),
                Err(error) => Err(error),
            },
            CommandKind::AddToQueue => match AddToQueueCommand::from_json(object) {
                Ok(payload) => Ok(Command::AddToQueue(payload)),
                Err(error) => Err(error),
            },
            CommandKind::SetQueue => match SetQueueCommand::from_json(object) {
                Ok(payload) => Ok(Command::SetQueue(payload)),
                Err(error) => Err(error),
            },
            CommandKind::SetOptions => match SetOptionsCommand::from_json(object) {
                Ok(payload) => Ok(Command::SetOptions(payload)),
                Err(error) => Err(error),
            },
            CommandKind::UpdateContext => match UpdateContextCommand::from_json(object) {
                Ok(payload) => Ok(Command::UpdateContext(payload)),
                Err(error) => Err(error),
            },
            CommandKind::SkipNext => match SkipNextCommand::from_json(object) {
                Ok(payload) => Ok(Command::SkipNext(payload)),
                Err(error) => Err(error),
            },
            CommandKind::SkipPrev => match GenericCommand::from_json(object) {
                Ok(payload) => Ok(Command::SkipPrev(payload)),
                Err(error) => Err(error),
            },
            CommandKind::Resume => match GenericCommand::from_json(object) {
                Ok(payload) => Ok(Command::Resume(payload)),
                Err(error) => Err(error),
            },
        }
    }

    /// Decodes a command.
    ///
    /// This fails only for a command of a known kind, and then names the
    /// kind and the member that could not be decoded.
    pub fn from_json(document: &Value) -> (read: Result<Command, DecodeFailure>)
        ensures
            outcome(read) == CommandView::from_json(json_of(*document)),
    {
        let kind = match read_endpoint(document) {
            Some(name) => CommandKind::from_endpoint(name),
            None => None,
        };
        match kind {
            Some(kind) => match Command::payload(kind, document) {
                Ok(command) => Ok(command),
                Err(error) => Err(DecodeFailure::Payload(kind, error)),
            },
            None => Ok(Command::Unknown(document.clone())),
        }
    }

    /// The label of the command.
    pub fn label(&self) -> (label: String)
        ensures
            label@ == self.deep_view().label(),
    {
        match self {
            Command::Unknown(document) => match read_endpoint(document) {
                Some(name) => name.to_owned(),
                None => "???".to_owned(),
            },
            _ => {
                let kind = self.kind();
                kind.unwrap().name().to_owned()
            },
        }
    }

    /// The line that names the command in a log.
    pub fn describe(&self) -> (line: String)
        ensures
            line@ == self.deep_view().description(),
    {
        let mut line = "endpoint: ".to_owned();
        if self.kind().is_none() {
            line.append("unknown ");
        }
        let label = self.label();
        line.append(label.as_str());
        line
    }
}

} // verus!
