//! Base64, which the `base64` crate undoes.

use vstd::prelude::*;

verus! {

#[verifier::external_type_specification]
#[verifier::external_body]
pub struct ExBase64Error(base64::DecodeError);

/// The bytes that a text is the base64 notation of, in the standard alphabet
/// and with padding; `None` where the `base64` crate does not accept the
/// text.
pub uninterp spec fn base64_decoded(text: Seq<char>) -> Option<Seq<u8>>;

/// `Engine::decode` of the engine `base64::prelude::BASE64_STANDARD`. It is
/// believed to be a function of the text alone: it accepts the text exactly
/// where [`base64_decoded`] has bytes for it, and then returns those bytes.
#[verifier::external_body]
pub(crate) fn decode_base64(text: &str) -> (decoded: Result<Vec<u8>, base64::DecodeError>)
    ensures
        decoded is Ok <==> base64_decoded(text@) is Some,
        decoded matches Ok(bytes) ==> base64_decoded(text@) == Some(bytes@),
{
    base64::Engine::decode(&base64::prelude::BASE64_STANDARD, text)
}

} // verus!
