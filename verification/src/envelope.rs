//! Decoding a request from the buffer that it arrived in.
//!
//! The buffer holds one JSON object with the members `message_id`,
//! `sent_by_device_id` and `command`, all required. The request is decoded as
//! a whole or not at all.

use crate::error::DecodeFailure;
use crate::field::Field;
use crate::json::{json_of, parse, parsed_json, JsonValue};
use crate::read::{outcome, required, required_text, required_u32};
use crate::request::{Command, CommandView, Request, RequestView};
use serde_json::Value;
use vstd::prelude::*;

verus! {

impl RequestView {
    /// The request that a document is.
    pub open spec fn from_json(document: JsonValue) -> Result<RequestView, DecodeFailure> {
        let message_id = document.required_u32(Field::MessageId);
        let sent_by_device_id = document.required_text(Field::SentByDeviceId);
        let command = document.required(Field::Command);
        if !(document is Object) {
            Err(DecodeFailure::NotAnObject)
        } else if message_id is Err {
            Err(DecodeFailure::Envelope(message_id->Err_0))
        } else if sent_by_device_id is Err {
            Err(DecodeFailure::Envelope(sent_by_device_id->Err_0))
        } else if command is Err {
            Err(DecodeFailure::Envelope(command->Err_0))
        } else {
            match CommandView::from_json(command->Ok_0) {
                Ok(command) => Ok(
                    RequestView {
                        message_id: message_id->Ok_0,
                        sent_by_device_id: sent_by_device_id->Ok_0,
                        command,
                    },
                ),
                Err(error) => Err(error),
            }
        }
    }

    /// The request that the outcome of parsing a buffer is.
    pub open spec fn from_parsed(parsed: Result<Value, serde_json::Error>) -> Result<
        RequestView,
        DecodeFailure,
    > {
        match parsed {
            Ok(document) => RequestView::from_json(json_of(document)),
            Err(_) => Err(DecodeFailure::Syntax),
        }
    }

    /// The request that a buffer holds.
    pub open spec fn decoded(buffer: Seq<char>) -> Result<RequestView, DecodeFailure> {
        match parsed_json(buffer) {
            Some(document) => RequestView::from_json(document),
            None => Err(DecodeFailure::Syntax),
        }
    }
}

impl Request {
    /// Decodes a request from the document that the buffer held.
    pub fn from_json(document: &Value) -> (read: Result<Request, DecodeFailure>)
        ensures
            outcome(read) == RequestView::from_json(json_of(*document)),
    {
        if !document.is_object() {
            return Err(DecodeFailure::NotAnObject);
        }
        let message_id = match required_u32(document, Field::MessageId) {
            Ok(number) => number,
            Err(error) => {
                return Err(DecodeFailure::Envelope(error));
            },
        };
        let sent_by_device_id = match required_text(document, Field::SentByDeviceId) {
            Ok(text) => text,
            Err(error) => {
                return Err(DecodeFailure::Envelope(error));
            },
        };
        let command = match required(document, Field::Command) {
            Ok(command) => command,
            Err(error) => {
                return Err(DecodeFailure::Envelope(error));
            },
        };
        let command = Command::from_json(command)?;
        Ok(Request { message_id, sent_by_device_id, command })
    }

    /// Decodes a request from the outcome of parsing the buffer.
    pub fn from_parsed(parsed: Result<Value, serde_json::Error>) -> (read: Result<
        Request,
        DecodeFailure,
    >)
        ensures
            outcome(read) == RequestView::from_parsed(parsed),
    {
        match parsed {
            Ok(document) => Request::from_json(&document),
            Err(_) => Err(DecodeFailure::Syntax),
        }
    }

    /// Decodes the request that a buffer holds.
    ///
    /// The result depends on the buffer alone: whenever and however often
    /// the same text is decoded, the same request or the same error comes
    /// out.
    pub fn decode(buffer: &str) -> (read: Result<Request, DecodeFailure>)
        ensures
            outcome(read) == RequestView::decoded(buffer@),
    {
        Request::from_parsed(parse(buffer))
    }
}

} // verus!
