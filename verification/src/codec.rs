//! Base64 (standard alphabet, padded), as the `base64` crate's `STANDARD` engine encodes
//! and decodes it.
use vstd::prelude::*;
use base64::Engine;

verus! {

/// The base64 text of `bytes` (standard alphabet, with padding).
pub uninterp spec fn base64_encoded(bytes: Seq<u8>) -> Seq<char>;

/// The bytes that the base64 text `text` stands for, when it is valid (standard alphabet,
/// canonical padding).
pub uninterp spec fn base64_decoded(text: Seq<char>) -> Option<Seq<u8>>;

/// `base64::engine::general_purpose::STANDARD.encode`: the padded base64 text of the bytes.
/// The contract names the result only; the crate panics when the text's length overflows
/// `usize`, which the bound on the input rules out.
#[verifier::external_body]
pub(crate) fn base64_encode(bytes: &[u8]) -> (r: String)
    requires
        bytes@.len() <= usize::MAX / 2,
    ensures
        r@ == base64_encoded(bytes@),
{
    base64::engine::general_purpose::STANDARD.encode(bytes)
}

/// `base64::engine::general_purpose::STANDARD.decode`: the bytes of valid base64 text, or
/// the crate's error, as its text, for invalid input. The contract names the result; what
/// the error's text says is not stated.
#[verifier::external_body]
pub(crate) fn base64_decode(text: &str) -> (r: Result<Vec<u8>, String>)
    ensures
        match r {
            Ok(v) => base64_decoded(text@) == Some(v@),
            Err(_) => base64_decoded(text@) is None,
        },
{
    base64::engine::general_purpose::STANDARD.decode(text).map_err(|e| e.to_string())
}

} // verus!
