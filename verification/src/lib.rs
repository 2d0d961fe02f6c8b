//! Decoding of the remote-control requests that a dealer pushes to a playback
//! client.
//!
//! A request arrives as one JSON object: an envelope around a command. The
//! command names its kind in the `endpoint` member, and each kind has a payload
//! of its own. Commands of a kind that this crate does not know are kept as
//! they came, so that a newer server never breaks an older client.
//!
//! Every decoder states, over a mathematical model of JSON documents, exactly
//! which value or which error it returns.
//!
//! - [`envelope`] decodes a request from its buffer: [`request::Request::decode`].
//! - [`command`] tells the kind of a command, decodes it and labels it.
//! - [`decode`] holds the payload of each kind and the records inside it.
//! - [`read`] reads one member of an object.
//! - [`request`] and [`payload`] hold the decoded types and their deep views.
//! - [`kind`] and [`field`] name the kinds of command and the members.
//! - [`error`] says why a request was not decoded.
//! - [`laws`] proves what holds of the decoders whatever they are given.
//! - [`json`] and [`codec`] hold what is believed, without proof, of
//!   `serde_json` and `base64`; nothing else in the crate is taken on trust.
//! - [`text`] compares texts.

pub mod codec;
pub mod command;
pub mod decode;
pub mod envelope;
pub mod error;
pub mod field;
pub mod json;
pub mod kind;
pub mod laws;
pub mod payload;
pub mod read;
pub mod request;
pub mod text;
