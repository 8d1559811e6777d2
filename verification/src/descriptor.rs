//! The descriptor-fragment codec: unpadded, standard-alphabet base64 text
//! used to carry a public key inside a human-shareable node descriptor.
//!
//! The encoding itself is supplied by an outside crate; its result is named,
//! not restated, in specifications.

use base64::Engine;
use vstd::prelude::*;

verus! {

/// The unpadded standard-alphabet base64 encoding of a byte sequence, named
/// but not defined: it is computed by an outside crate.
pub uninterp spec fn base64_nopad_of(bytes: Seq<u8>) -> Seq<char>;

/// The message returned for a fragment that is not valid base64; it embeds
/// the offending input verbatim.
pub open spec fn spec_invalid_fragment_message(fragment: Seq<char>) -> Seq<char> {
    "Invalid Base64 value for public key: "@ + fragment
}

/// Relies on base64's `STANDARD_NO_PAD` engine `encode`: unpadded
/// standard-alphabet base64, a function of the input bytes alone, and empty
/// exactly when the input is empty.
#[verifier::external_body]
pub(crate) fn b64_encode_nopad(bytes: &[u8]) -> (r: String)
    ensures
        r@ == base64_nopad_of(bytes@),
        (r@.len() == 0 <==> bytes@.len() == 0),
{
    base64::engine::general_purpose::STANDARD_NO_PAD.encode(bytes)
}

/// Relies on base64's `STANDARD_NO_PAD` engine `decode`: it inverts the
/// engine's `encode`, succeeding on every unpadded standard-alphabet encoding
/// and returning that encoding's preimage.
#[verifier::external_body]
pub(crate) fn b64_decode_nopad(fragment: &str) -> (r: Result<Vec<u8>, ()>)
    ensures
        forall|b: Seq<u8>| fragment@ == base64_nopad_of(b) ==> r is Ok && r->Ok_0@ == b,
{
    match base64::engine::general_purpose::STANDARD_NO_PAD.decode(fragment) {
        Ok(bytes) => Ok(bytes),
        Err(_) => Err(()),
    }
}

} // verus!
