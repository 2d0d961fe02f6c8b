//! Why a request was not decoded.

use crate::field::Field;
use crate::kind::CommandKind;
use vstd::prelude::*;

verus! {

/// What is wrong with a member.
#[derive(Clone, Copy, Debug, PartialEq, Eq)]
pub enum Fault {
    /// A required member is absent.
    Missing,
    /// The member is present and holds a document of the wrong type.
    Mistyped,
    /// The member holds text, and the text is not the notation of what it
    /// should carry: not a JSON object, or not base64.
    Unparsable,
}

/// A member that could not be decoded, and why.
#[derive(Clone, Copy, Debug, PartialEq, Eq)]
pub struct FieldError {
    pub field: Field,
    pub fault: Fault,
}

/// Why a request was not decoded.
#[derive(Clone, Copy, Debug, PartialEq, Eq)]
pub enum DecodeFailure {
    /// The buffer does not hold a JSON document.
    Syntax,
    /// The buffer holds a JSON document that is not an object.
    NotAnObject,
    /// A member of the envelope could not be decoded.
    Envelope(FieldError),
    /// The command is of a known kind, and a member of its payload could not
    /// be decoded.
    Payload(CommandKind, FieldError),
}

/// The error for `field` with `fault`.
pub open spec fn failed(field: Field, fault: Fault) -> FieldError {
    FieldError { field, fault }
}

} // verus!
