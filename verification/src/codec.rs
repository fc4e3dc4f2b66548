//! Base64 with the standard alphabet and padding.
use base64::Engine;
use vstd::prelude::*;

verus! {

/// What `base64::engine::general_purpose::STANDARD.decode` gives for the
/// bytes of a text: the decoded bytes, or the `Display` text of its error.
pub uninterp spec fn base64_standard_decode(s: Seq<char>) -> Result<Seq<u8>, Seq<char>>;

/// What `base64::engine::general_purpose::STANDARD.encode` gives for bytes.
pub uninterp spec fn base64_standard_encode(b: Seq<u8>) -> Seq<char>;

/// `STANDARD.decode(s.as_bytes())`, its error rendered by `Display`.
#[verifier::external_body]
pub(crate) fn decode_base64(s: &str) -> (r: Result<Vec<u8>, String>)
    ensures
        match (r, base64_standard_decode(s@)) {
            (Ok(v), Ok(w)) => v@ == w,
            (Err(m), Err(n)) => m@ == n,
            _ => false,
        },
{
    match base64::engine::general_purpose::STANDARD.decode(s.as_bytes()) {
        Ok(v) => Ok(v),
        Err(e) => Err(e.to_string()),
    }
}

/// `STANDARD.encode(bytes)`.
#[verifier::external_body]
pub(crate) fn encode_base64(bytes: &[u8]) -> (r: String)
    ensures
        r@ == base64_standard_encode(bytes@),
{
    base64::engine::general_purpose::STANDARD.encode(bytes)
}

} // verus!
