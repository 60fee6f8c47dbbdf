//! Base64 text for binary values on the wire and in client identifiers.
use vstd::prelude::*;

verus! {

/// The standard, padded base64 text of `bytes`.
pub uninterp spec fn base64_text(bytes: Seq<u8>) -> Seq<char>;

/// The bytes that the standard base64 text `text` stands for, if it is valid.
pub uninterp spec fn base64_bytes(text: Seq<u8>) -> Option<Seq<u8>>;

/// The bytes of a text whose characters are all ASCII, as base64 text is.
pub open spec fn text_bytes(text: Seq<char>) -> Seq<u8> {
    text.map_values(|c: char| c as u8)
}

/// Relies on base64::encode (standard alphabet, padded): the text depends on
/// the bytes alone, and base64::decode of it gives the bytes back.
#[verifier::external_body]
pub(crate) fn base64_encode(bytes: &[u8]) -> (r: String)
    ensures
        r@ == base64_text(bytes@),
        base64_bytes(text_bytes(r@)) == Some(bytes@),
{
    base64::encode(bytes)
}

/// Relies on base64::decode (standard alphabet): the bytes of valid text, and
/// an error exactly when the text is not valid; both depend on the text alone.
#[verifier::external_body]
pub(crate) fn base64_decode(text: &[u8]) -> (r: Option<Vec<u8>>)
    ensures
        r is None <==> base64_bytes(text@) is None,
        r matches Some(v) ==> base64_bytes(text@) == Some(v@),
{
    base64::decode(text).ok()
}

} // verus!
