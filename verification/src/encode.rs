use vstd::prelude::*;

verus! {

/// The standard, padded base64 rendering of a byte sequence, as the base64
/// crate's STANDARD engine computes it.
pub uninterp spec fn base64_of(bytes: Seq<u8>) -> Seq<char>;

/// Relies on base64::engine::Engine::encode with the
/// base64::engine::general_purpose::STANDARD engine: the padded standard
/// base64 encoding, a function of the input bytes alone.
#[verifier::external_body]
pub(crate) fn base64_encode(bytes: &[u8]) -> (r: String)
    ensures
        r@ == base64_of(bytes@),
{
    base64::Engine::encode(&base64::engine::general_purpose::STANDARD, bytes)
}

} // verus!
