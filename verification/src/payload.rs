//! The records that a command carries in an encoding of their own.
//!
//! A context, a play origin, a track and a set of player option overrides
//! arrive as JSON text inside a string member; a transfer state arrives as
//! base64 text. The decoder undoes that outer encoding and checks that
//! something of the right shape was inside. What the record means is for the
//! consumer to say: it is handed on as it was found.

use crate::json::{json_of, JsonValue};
use serde_json::Value;
use vstd::prelude::*;

verus! {

/// What is to be played: the JSON object that the `context` member carried.
#[derive(Clone, Debug, PartialEq, Eq)]
pub struct Context {
    pub document: Value,
}

/// Where a play command came from: the JSON object that the `play_origin`
/// member carried.
#[derive(Clone, Debug, PartialEq, Eq)]
pub struct PlayOrigin {
    pub document: Value,
}

/// A track: the JSON object that a track member, or an item of a track list,
/// carried.
#[derive(Clone, Debug, PartialEq, Eq)]
pub struct ProvidedTrack {
    pub document: Value,
}

/// Player options that a play command overrides: the JSON object that the
/// `player_options_override` member carried.
#[derive(Clone, Debug, PartialEq, Eq)]
pub struct ContextPlayerOptionOverrides {
    pub document: Value,
}

/// The playback state that a transfer hands over: the bytes that the `data`
/// member carried.
#[derive(Clone, Debug, PartialEq, Eq)]
pub struct TransferState {
    pub bytes: Vec<u8>,
}

impl DeepView for Context {
    type V = JsonValue;

    open spec fn deep_view(&self) -> JsonValue {
        json_of(self.document)
    }
}

impl DeepView for PlayOrigin {
    type V = JsonValue;

    open spec fn deep_view(&self) -> JsonValue {
        json_of(self.document)
    }
}

impl DeepView for ProvidedTrack {
    type V = JsonValue;

    open spec fn deep_view(&self) -> JsonValue {
        json_of(self.document)
    }
}

impl DeepView for ContextPlayerOptionOverrides {
    type V = JsonValue;

    open spec fn deep_view(&self) -> JsonValue {
        json_of(self.document)
    }
}

impl DeepView for TransferState {
    type V = Seq<u8>;

    open spec fn deep_view(&self) -> Seq<u8> {
        self.bytes@
    }
}

} // verus!
